use vstd::prelude::*;

use crate::materials::{direction_of, find_closest, selection, Block as CatalogEntry, Direction};
use crate::nbt::{
    lemma_set_all_keeps_wf, set_all_spec, structure_wf, Coords, Palette, PaletteView, Structure,
    StructureContents,
};
use crate::transform::{
    point_in_i32, rotations_point, scale_point, steps_brush, steps_fit, steps_point, Rotation,
    Transform, TransformStep,
};

verus! {

/// Paint-thickness policy of a face: the whole scaled cube, or the one-voxel
/// layer on one signed side of it.
#[derive(Clone, Copy, PartialEq, Eq, Structural, Debug)]
pub enum Brush {
    Full,
    XPos,
    XNeg,
    YPos,
    YNeg,
    ZPos,
    ZNeg,
}

/// The offsets a brush covers along one axis (0, 1 or 2) of a cube of side
/// `scale`: the top layer, the bottom layer, or all of them.
pub open spec fn axis_values(b: Brush, axis: int, scale: int) -> Seq<i32> {
    let pos = (axis == 0 && b == Brush::XPos) || (axis == 1 && b == Brush::YPos) || (axis == 2
        && b == Brush::ZPos);
    let neg = (axis == 0 && b == Brush::XNeg) || (axis == 1 && b == Brush::YNeg) || (axis == 2
        && b == Brush::ZNeg);
    if scale <= 0 {
        Seq::empty()
    } else if pos {
        seq![(scale - 1) as i32]
    } else if neg {
        seq![0i32]
    } else {
        Seq::new(scale as nat, |i: int| i as i32)
    }
}

pub open spec fn line(x: i32, y: i32, zs: Seq<i32>) -> Seq<(i32, i32, i32)> {
    zs.map_values(|z: i32| (x, y, z))
}

pub open spec fn layer(x: i32, ys: Seq<i32>, zs: Seq<i32>) -> Seq<(i32, i32, i32)>
    decreases ys.len(),
{
    if ys.len() == 0 {
        Seq::empty()
    } else {
        layer(x, ys.drop_last(), zs) + line(x, ys.last(), zs)
    }
}

/// Every combination of the three axes' values, x slowest and z fastest.
pub open spec fn grid(xs: Seq<i32>, ys: Seq<i32>, zs: Seq<i32>) -> Seq<(i32, i32, i32)>
    decreases xs.len(),
{
    if xs.len() == 0 {
        Seq::empty()
    } else {
        grid(xs.drop_last(), ys, zs) + layer(xs.last(), ys, zs)
    }
}

/// The offsets, relative to a texel's anchor voxel, that a brush paints at
/// the given scale.
pub open spec fn brush_offsets(b: Brush, scale: int) -> Seq<(i32, i32, i32)> {
    grid(axis_values(b, 0, scale), axis_values(b, 1, scale), axis_values(b, 2, scale))
}

impl Brush {
    /// The offsets this brush paints in a cube of side `scaling`: all of it
    /// for `Full`, else the one-voxel layer on the brush's side.
    pub fn make_offsets(&self, scaling: i32) -> (r: Vec<(i32, i32, i32)>)
        ensures
            r@ == brush_offsets(*self, scaling as int),
    {
        let xs = axis_vec(*self, 0, scaling);
        let ys = axis_vec(*self, 1, scaling);
        let zs = axis_vec(*self, 2, scaling);
        let mut offsets: Vec<(i32, i32, i32)> = Vec::new();
        let mut i: usize = 0;
        proof {
            assert(xs@.take(0) =~= Seq::<i32>::empty());
        }
        while i < xs.len()
            invariant
                i <= xs@.len(),
                offsets@ == grid(xs@.take(i as int), ys@, zs@),
            decreases xs@.len() - i,
        {
            let x = xs[i];
            let mut j: usize = 0;
            proof {
                assert(ys@.take(0) =~= Seq::<i32>::empty());
                assert(offsets@ =~= grid(xs@.take(i as int), ys@, zs@) + layer(x, ys@.take(0), zs@));
            }
            while j < ys.len()
                invariant
                    i < xs@.len(),
                    x == xs@[i as int],
                    j <= ys@.len(),
                    offsets@ == grid(xs@.take(i as int), ys@, zs@) + layer(x, ys@.take(j as int), zs@),
                decreases ys@.len() - j,
            {
                let y = ys[j];
                let mut k: usize = 0;
                let ghost before = offsets@;
                proof {
                    assert(zs@.take(0) =~= Seq::<i32>::empty());
                    assert(offsets@ =~= before + line(x, y, zs@.take(0)));
                }
                while k < zs.len()
                    invariant
                        j < ys@.len(),
                        y == ys@[j as int],
                        k <= zs@.len(),
                        offsets@ == before + line(x, y, zs@.take(k as int)),
                    decreases zs@.len() - k,
                {
                    offsets.push((x, y, zs[k]));
                    k = k + 1;
                    proof {
                        assert(line(x, y, zs@.take(k as int)) =~= line(x, y, zs@.take(k - 1)).push(
                            (x, y, zs@[k - 1]),
                        ));
                        assert(offsets@ =~= before + line(x, y, zs@.take(k as int)));
                    }
                }
                proof {
                    assert(zs@.take(k as int) =~= zs@);
                    assert(ys@.take(j + 1).drop_last() =~= ys@.take(j as int));
                    assert(layer(x, ys@.take(j + 1), zs@) == layer(x, ys@.take(j as int), zs@)
                        + line(x, y, zs@));
                    assert(offsets@ =~= grid(xs@.take(i as int), ys@, zs@) + layer(
                        x,
                        ys@.take(j + 1),
                        zs@,
                    ));
                }
                j = j + 1;
            }
            proof {
                assert(ys@.take(j as int) =~= ys@);
                assert(xs@.take(i + 1).drop_last() =~= xs@.take(i as int));
            }
            i = i + 1;
        }
        proof {
            assert(xs@.take(i as int) =~= xs@);
        }
        offsets
    }
}

fn axis_vec(b: Brush, axis: usize, scaling: i32) -> (r: Vec<i32>)
    requires
        axis < 3,
    ensures
        r@ == axis_values(b, axis as int, scaling as int),
{
    let pos = (axis == 0 && b == Brush::XPos) || (axis == 1 && b == Brush::YPos) || (axis == 2
        && b == Brush::ZPos);
    let neg = (axis == 0 && b == Brush::XNeg) || (axis == 1 && b == Brush::YNeg) || (axis == 2
        && b == Brush::ZNeg);
    let mut v: Vec<i32> = Vec::new();
    if scaling <= 0 {
        proof {
            assert(v@ =~= axis_values(b, axis as int, scaling as int));
        }
        return v;
    }
    if pos {
        v.push(scaling - 1);
        proof {
            assert(v@ =~= axis_values(b, axis as int, scaling as int));
        }
        return v;
    }
    if neg {
        v.push(0);
        proof {
            assert(v@ =~= axis_values(b, axis as int, scaling as int));
        }
        return v;
    }
    let mut i: i32 = 0;
    while i < scaling
        invariant
            0 <= i <= scaling,
            v@ =~= Seq::new(i as nat, |k: int| k as i32),
        decreases scaling - i,
    {
        v.push(i);
        i = i + 1;
    }
    v
}

/// Size of a cuboid in model units.
#[derive(Clone, Copy, PartialEq, Eq, Structural, Debug)]
pub struct Dimensions3D {
    pub x: u32,
    pub y: u32,
    pub z: u32,
}

impl From<[u32; 3]> for Dimensions3D {
    fn from(value: [u32; 3]) -> (r: Self) {
        Dimensions3D { x: value[0], y: value[1], z: value[2] }
    }
}

impl vstd::std_specs::convert::FromSpecImpl<[u32; 3]> for Dimensions3D {
    open spec fn obeys_from_spec() -> bool {
        true
    }

    open spec fn from_spec(v: [u32; 3]) -> Dimensions3D {
        Dimensions3D { x: v@[0], y: v@[1], z: v@[2] }
    }
}

/// Size of a plane in model units.
#[derive(Clone, Copy, PartialEq, Eq, Structural, Debug)]
pub struct Dimensions2D {
    pub x: u32,
    pub y: u32,
}

impl From<[u32; 2]> for Dimensions2D {
    fn from(value: [u32; 2]) -> (r: Self) {
        Dimensions2D { x: value[0], y: value[1] }
    }
}

impl vstd::std_specs::convert::FromSpecImpl<[u32; 2]> for Dimensions2D {
    open spec fn obeys_from_spec() -> bool {
        true
    }

    open spec fn from_spec(v: [u32; 2]) -> Dimensions2D {
        Dimensions2D { x: v@[0], y: v@[1] }
    }
}

/// Top-left texel of each face's rectangle in the texture.
#[derive(Clone, Copy, PartialEq, Eq, Debug)]
pub struct TextureOffsets {
    pub top: (u32, u32),
    pub bottom: (u32, u32),
    pub right: (u32, u32),
    pub left: (u32, u32),
    pub front: (u32, u32),
    pub back: (u32, u32),
}

/// A rectangle of the texture and the transform that lays it, as the plane
/// y = 0 with texture columns along x and rows along z, into its primitive's
/// frame.
#[derive(Clone, Debug)]
pub struct Face {
    pub x: u32,
    pub y: u32,
    pub width: u32,
    pub height: u32,
    pub transform: Transform,
}

/// What a face is: its texture rectangle and the steps of its transform.
pub struct FaceView {
    pub x: u32,
    pub y: u32,
    pub width: u32,
    pub height: u32,
    pub steps: Seq<TransformStep>,
}

impl View for Face {
    type V = FaceView;

    open spec fn view(&self) -> FaceView {
        FaceView {
            x: self.x,
            y: self.y,
            width: self.width,
            height: self.height,
            steps: self.transform.step_seq(),
        }
    }
}

/// An RGBA texture, stored row by row.
#[derive(Clone, Debug)]
pub struct Texture {
    pub width: u32,
    pub height: u32,
    pub rows: Vec<Vec<[u8; 4]>>,
}

impl Texture {
    /// There are `height` rows of `width` texels each.
    pub open spec fn wf(&self) -> bool {
        &&& self.rows@.len() == self.height
        &&& forall|i: int| 0 <= i < self.rows@.len() ==> #[trigger] self.rows@[i]@.len() == self.width
    }

    /// The channels of the texel in column `x` of row `y`.
    pub open spec fn texel(&self, x: int, y: int) -> Seq<u8> {
        self.rows@[y]@[x]@
    }

    /// A texture of `height` rows of `width` texels; `None` when `rows` has
    /// another shape.
    pub fn new(width: u32, height: u32, rows: Vec<Vec<[u8; 4]>>) -> (r: Option<Texture>)
        ensures
            r matches Some(t) ==> t.wf() && t.width == width && t.height == height && t.rows@
                == rows@,
            r is None ==> !(Texture { width, height, rows }).wf(),
    {
        let t = Texture { width, height, rows };
        if t.is_well_formed() {
            Some(t)
        } else {
            None
        }
    }

    pub fn is_well_formed(&self) -> (r: bool)
        ensures
            r == self.wf(),
    {
        if self.rows.len() != self.height as usize {
            return false;
        }
        let mut i: usize = 0;
        while i < self.rows.len()
            invariant
                i <= self.rows@.len(),
                forall|k: int| 0 <= k < i ==> #[trigger] self.rows@[k]@.len() == self.width,
            decreases self.rows@.len() - i,
        {
            if self.rows[i].len() != self.width as usize {
                return false;
            }
            i = i + 1;
        }
        true
    }
}

/// Why a face could not be drawn. Nothing is drawn when one of these is
/// returned.
#[derive(Clone, Copy, PartialEq, Eq, Structural, Debug)]
pub enum DrawError {
    /// The face's rotations do not turn the up vector onto an axis.
    InvalidRotation,
    /// The face's rectangle reaches outside the texture.
    OutOfBounds,
    /// A voxel coordinate does not fit in `i32`.
    Overflow,
    /// The palette could grow past what an `i32` index can reach.
    TooManyMaterials,
}

/// How a face is rasterised once its transform is composed: the steps and
/// scale, the offsets that the brush paints, and the outward normal.
pub struct Raster {
    pub steps: Seq<TransformStep>,
    pub scale: int,
    pub offsets: Seq<(i32, i32, i32)>,
    pub normal: Direction,
}

pub open spec fn to_coords(p: (int, int, int)) -> Coords {
    Coords { x: p.0 as i32, y: p.1 as i32, z: p.2 as i32 }
}

pub open spec fn offset_point(a: (int, int, int), o: (i32, i32, i32)) -> (int, int, int) {
    (a.0 + o.0, a.1 + o.1, a.2 + o.2)
}

/// The voxels painted for the texel in column `col` of row `row` of the face:
/// the texel's anchor, where the transform sends (col, 0, row), plus each
/// brush offset; `None` when a coordinate leaves `i32`.
pub open spec fn texel_voxels(r: Raster, col: int, row: int) -> Option<Seq<Coords>> {
    let start = scale_point(r.scale, (col, 0, row));
    let anchor = steps_point(r.steps, r.scale, start);
    if point_in_i32((col, 0, row)) && steps_fit(r.steps, r.scale, start) && forall|k: int|
        0 <= k < r.offsets.len() ==> point_in_i32(#[trigger] offset_point(anchor, r.offsets[k])) {
        Some(r.offsets.map_values(|o: (i32, i32, i32)| to_coords(offset_point(anchor, o))))
    } else {
        None
    }
}

/// The placements made for one texel: none when its alpha is below 128, else
/// the material matched to its colour and the face normal at each painted voxel.
pub open spec fn texel_writes(
    r: Raster,
    texture: Texture,
    catalog: Seq<CatalogEntry>,
    face: FaceView,
    col: int,
    row: int,
) -> Option<Seq<(Coords, PaletteView)>> {
    let px = texture.texel(face.x + col, face.y + row);
    if px[3] < 128 {
        Some(Seq::empty())
    } else {
        match texel_voxels(r, col, row) {
            None => None,
            Some(vs) => Some(
                vs.map_values(|c: Coords| (c, selection(catalog, px, r.normal))),
            ),
        }
    }
}

pub open spec fn join(a: Option<Seq<(Coords, PaletteView)>>, b: Option<Seq<(Coords, PaletteView)>>) -> Option<Seq<(Coords, PaletteView)>> {
    match (a, b) {
        (Some(x), Some(y)) => Some(x + y),
        _ => None,
    }
}

/// A texel with alpha below 128 places nothing. A texel with alpha of at
/// least 128 whose voxels fit in `i32` places one voxel per brush offset, at
/// its anchor plus that offset, each with the material matched to its colour.
pub proof fn lemma_alpha_threshold(
    r: Raster,
    texture: Texture,
    catalog: Seq<CatalogEntry>,
    face: FaceView,
    col: int,
    row: int,
)
    ensures
        texture.texel(face.x + col, face.y + row)[3] < 128 ==> texel_writes(
            r,
            texture,
            catalog,
            face,
            col,
            row,
        ) == Some(Seq::<(Coords, PaletteView)>::empty()),
        texture.texel(face.x + col, face.y + row)[3] >= 128 && texel_voxels(r, col, row) is Some
            ==> {
            let px = texture.texel(face.x + col, face.y + row);
            let anchor = steps_point(r.steps, r.scale, scale_point(r.scale, (col, 0, row)));
            &&& texel_writes(r, texture, catalog, face, col, row) matches Some(ws)
            &&& ws.len() == r.offsets.len()
            &&& forall|k: int|
                0 <= k < ws.len() ==> #[trigger] ws[k] == (
                    to_coords(offset_point(anchor, r.offsets[k])),
                    selection(catalog, px, r.normal),
                )
        },
{
}

/// One of the six unit vectors along the axes.
pub open spec fn is_unit_axis(p: (int, int, int)) -> bool {
    ||| p == (1int, 0int, 0int)
    ||| p == (-1int, 0int, 0int)
    ||| p == (0int, 1int, 0int)
    ||| p == (0int, -1int, 0int)
    ||| p == (0int, 0int, 1int)
    ||| p == (0int, 0int, -1int)
}

/// Quarter turns send the up vector to a unit vector along an axis, so the
/// normal of a face always resolves to a direction.
pub proof fn lemma_normal_resolves(steps: Seq<TransformStep>)
    ensures
        is_unit_axis(rotations_point(steps, (0, 1, 0))),
        direction_of(rotations_point(steps, (0, 1, 0))) is Some,
    decreases steps.len(),
{
    if steps.len() > 0 {
        lemma_normal_resolves(steps.drop_last());
    }
}

/// The placements for the first `ncols` texels of a row, left to right.
pub open spec fn row_writes(
    r: Raster,
    texture: Texture,
    catalog: Seq<CatalogEntry>,
    face: FaceView,
    row: int,
    ncols: int,
) -> Option<Seq<(Coords, PaletteView)>>
    decreases ncols,
{
    if ncols <= 0 {
        Some(Seq::empty())
    } else {
        join(
            row_writes(r, texture, catalog, face, row, ncols - 1),
            texel_writes(r, texture, catalog, face, ncols - 1, row),
        )
    }
}

/// The placements for the first `nrows` rows of the face, top to bottom.
pub open spec fn rect_writes(
    r: Raster,
    texture: Texture,
    catalog: Seq<CatalogEntry>,
    face: FaceView,
    nrows: int,
) -> Option<Seq<(Coords, PaletteView)>>
    decreases nrows,
{
    if nrows <= 0 {
        Some(Seq::empty())
    } else {
        join(
            rect_writes(r, texture, catalog, face, nrows - 1),
            row_writes(r, texture, catalog, face, nrows - 1, face.width as int),
        )
    }
}

/// The steps of `pre`, then those of the face, then those of `post`.
pub open spec fn composed_steps(
    pre: Seq<TransformStep>,
    face: FaceView,
    post: Seq<TransformStep>,
) -> Seq<TransformStep> {
    pre + face.steps + post
}

pub open spec fn face_raster(
    pre: Seq<TransformStep>,
    scale: int,
    face: FaceView,
    post: Seq<TransformStep>,
    brush: Brush,
    normal: Direction,
) -> Raster {
    let steps = composed_steps(pre, face, post);
    Raster { steps, scale, offsets: brush_offsets(steps_brush(steps, brush), scale), normal }
}

/// What drawing a face does: the error it fails with, or the placements it
/// makes, in order. The transform is the steps `pre`, the face's steps and
/// the steps `post`, at scale `scale`; `palette_len` is the length of the
/// structure's palette before the face is drawn.
pub open spec fn face_draw_spec(
    face: FaceView,
    texture: Texture,
    catalog: Seq<CatalogEntry>,
    pre: Seq<TransformStep>,
    scale: int,
    post: Seq<TransformStep>,
    brush: Brush,
    palette_len: int,
) -> Result<Seq<(Coords, PaletteView)>, DrawError> {
    let steps = composed_steps(pre, face, post);
    match direction_of(rotations_point(steps, (0, 1, 0))) {
        None => Err(DrawError::InvalidRotation),
        Some(normal) => if face.x + face.width > texture.width || face.y + face.height
            > texture.height {
            Err(DrawError::OutOfBounds)
        } else {
            match rect_writes(
                face_raster(pre, scale, face, post, brush, normal),
                texture,
                catalog,
                face,
                face.height as int,
            ) {
                None => Err(DrawError::Overflow),
                Some(ws) => if palette_len + ws.len() >= i32::MAX {
                    Err(DrawError::TooManyMaterials)
                } else {
                    Ok(ws)
                },
            }
        },
    }
}

/// Drawing a face on a structure: the placements made one after another, or
/// the structure unchanged and the error.
pub open spec fn face_draw_outcome(
    s: StructureContents,
    face: FaceView,
    texture: Texture,
    catalog: Seq<CatalogEntry>,
    pre: Seq<TransformStep>,
    scale: int,
    post: Seq<TransformStep>,
    brush: Brush,
) -> (StructureContents, Result<(), DrawError>) {
    match face_draw_spec(face, texture, catalog, pre, scale, post, brush, s.0.len() as int) {
        Ok(ws) => (set_all_spec(s, ws), Ok(())),
        Err(e) => (s, Err(e)),
    }
}

proof fn lemma_set_all_palette_growth(s: StructureContents, ws: Seq<(Coords, PaletteView)>)
    ensures
        set_all_spec(s, ws).0.len() <= s.0.len() + ws.len(),
    decreases ws.len(),
{
    if ws.len() > 0 {
        lemma_set_all_palette_growth(s, ws.drop_last());
    }
}

impl Face {
    /// Rasterises the face into `structure`. The transform is `pre_transform`,
    /// then the face's own, then `post_transform`, at the scale of
    /// `pre_transform`; the brush and the up vector are carried through it
    /// to give the painted layer and the outward normal. Each texel with alpha
    /// of at least 128, in row-major order, gets the catalog material closest
    /// to its colour, written at every voxel its brush paints.
    pub fn draw(
        &self,
        structure: &mut Structure,
        texture: &Texture,
        catalog: &Vec<CatalogEntry>,
        pre_transform: &Transform,
        post_transform: &Transform,
        brush: Brush,
    ) -> (r: Result<(), DrawError>)
        requires
            texture.wf(),
        ensures
            (final(structure).view_parts(), r) == face_draw_outcome(
                old(structure).view_parts(),
                self@,
                *texture,
                catalog@,
                pre_transform.step_seq(),
                pre_transform.scaling as int,
                post_transform.step_seq(),
                brush,
            ),
            final(structure).data_version == old(structure).data_version,
            final(structure).size == old(structure).size,
            structure_wf(old(structure).view_parts()) ==> structure_wf(final(structure).view_parts()),
            r != Err::<(), DrawError>(DrawError::InvalidRotation),
    {
        proof {
            lemma_normal_resolves(
                composed_steps(pre_transform.step_seq(), self@, post_transform.step_seq()),
            );
        }
        let transform = Transform { steps: Vec::new(), scaling: pre_transform.scaling }
            .followed_by(pre_transform)
            .followed_by(&self.transform)
            .followed_by(post_transform);
        proof {
            assert(transform.step_seq() =~= composed_steps(
                pre_transform.step_seq(),
                self@,
                post_transform.step_seq(),
            ));
        }
        let painted = transform.brush(brush);
        let net_rotation = transform.rotate_only(0, 1, 0);
        let normal = match Direction::from_unit(net_rotation) {
            Ok(d) => d,
            Err(()) => return Err(DrawError::InvalidRotation),
        };
        if self.x as u64 + self.width as u64 > texture.width as u64 || self.y as u64
            + self.height as u64 > texture.height as u64 {
            return Err(DrawError::OutOfBounds);
        }
        let offsets = painted.make_offsets(transform.scaling);
        let ghost raster = face_raster(
            pre_transform.step_seq(),
            pre_transform.scaling as int,
            self@,
            post_transform.step_seq(),
            brush,
            normal,
        );
        let writes = match self.collect_writes(texture, catalog, &transform, &offsets, normal, Ghost(raster)) {
            Some(w) => w,
            None => return Err(DrawError::Overflow),
        };
        if structure.palette.len() >= i32::MAX as usize || writes.len() >= i32::MAX as usize
            - structure.palette.len() {
            return Err(DrawError::TooManyMaterials);
        }
        let ghost ws = writes@.map_values(|w: (Coords, Palette)| (w.0, w.1@));
        let ghost start = structure.view_parts();
        let ghost start_len = structure.palette@.len();
        let mut k: usize = 0;
        proof {
            assert(ws.take(0) =~= Seq::<(Coords, PaletteView)>::empty());
        }
        while k < writes.len()
            invariant
                k <= writes@.len(),
                ws == writes@.map_values(|w: (Coords, Palette)| (w.0, w.1@)),
                structure.view_parts() == set_all_spec(start, ws.take(k as int)),
                start.0.len() == start_len,
                start_len + writes@.len() < i32::MAX,
                structure.data_version == old(structure).data_version,
                structure.size == old(structure).size,
            decreases writes@.len() - k,
        {
            proof {
                lemma_set_all_palette_growth(start, ws.take(k as int));
                assert(ws.take(k + 1).drop_last() =~= ws.take(k as int));
                assert(ws.take(k + 1).last() == ws[k as int]);
            }
            let w = &writes[k];
            structure.set_block(w.0, w.1.duplicate());
            k = k + 1;
        }
        proof {
            assert(ws.take(k as int) =~= ws);
            if structure_wf(start) {
                lemma_set_all_keeps_wf(start, ws);
            }
        }
        Ok(())
    }

    /// The placements of every texel, or `None` when a coordinate overflows.
    fn collect_writes(
        &self,
        texture: &Texture,
        catalog: &Vec<CatalogEntry>,
        transform: &Transform,
        offsets: &Vec<(i32, i32, i32)>,
        normal: Direction,
        raster: Ghost<Raster>,
    ) -> (r: Option<Vec<(Coords, Palette)>>)
        requires
            texture.wf(),
            self.x + self.width <= texture.width,
            self.y + self.height <= texture.height,
            raster@.steps == transform.step_seq(),
            raster@.scale == transform.scaling,
            raster@.offsets == offsets@,
            raster@.normal == normal,
        ensures
            match rect_writes(raster@, *texture, catalog@, self@, self.height as int) {
                None => r is None,
                Some(ws) => r matches Some(v) && v@.map_values(|w: (Coords, Palette)| (w.0, w.1@))
                    == ws,
            },
    {
        let ghost rs = raster@;
        let mut writes: Vec<(Coords, Palette)> = Vec::new();
        let mut row: u32 = 0;
        while row < self.height
            invariant
                texture.wf(),
                self.x + self.width <= texture.width,
                self.y + self.height <= texture.height,
                rs == raster@,
                rs.steps == transform.step_seq(),
                rs.scale == transform.scaling,
                rs.offsets == offsets@,
                rs.normal == normal,
                row <= self.height,
                rect_writes(rs, *texture, catalog@, self@, row as int) == Some(
                    writes@.map_values(|w: (Coords, Palette)| (w.0, w.1@)),
                ),
            decreases self.height - row,
        {
            let ghost before = writes@.map_values(|w: (Coords, Palette)| (w.0, w.1@));
            let mut col: u32 = 0;
            proof {
                assert(before =~= before + Seq::<(Coords, PaletteView)>::empty());
            }
            while col < self.width
                invariant
                    texture.wf(),
                    self.x + self.width <= texture.width,
                    self.y + self.height <= texture.height,
                    rs == raster@,
                    rs.steps == transform.step_seq(),
                    rs.scale == transform.scaling,
                    rs.offsets == offsets@,
                    rs.normal == normal,
                    row < self.height,
                    col <= self.width,
                    rect_writes(rs, *texture, catalog@, self@, row as int) == Some(before),
                    row_writes(rs, *texture, catalog@, self@, row as int, col as int) matches Some(
                        cur,
                    ) && writes@.map_values(|w: (Coords, Palette)| (w.0, w.1@)) == before + cur,
                decreases self.width - col,
            {
                let ok = self.texel_writes_into(
                    &mut writes,
                    texture,
                    catalog,
                    transform,
                    offsets,
                    normal,
                    col,
                    row,
                    Ghost(rs),
                );
                if !ok {
                    proof {
                        lemma_row_writes_none_after(rs, *texture, catalog@, self@, row as int, col as int);
                        lemma_rect_writes_none(rs, *texture, catalog@, self@, row as int);
                    }
                    return None;
                }
                col = col + 1;
                proof {
                    let cur = row_writes(rs, *texture, catalog@, self@, row as int, col - 1)->0;
                    let t = texel_writes(rs, *texture, catalog@, self@, col - 1, row as int)->0;
                    assert(writes@.map_values(|w: (Coords, Palette)| (w.0, w.1@)) =~= before + (cur
                        + t));
                }
            }
            row = row + 1;
            proof {
                let cur = row_writes(rs, *texture, catalog@, self@, row - 1, self.width as int)->0;
                assert(writes@.map_values(|w: (Coords, Palette)| (w.0, w.1@)) == before + cur);
            }
        }
        Some(writes)
    }

    /// Appends the placements of one texel; `false`, with `writes` in any
    /// state, when a coordinate overflows.
    fn texel_writes_into(
        &self,
        writes: &mut Vec<(Coords, Palette)>,
        texture: &Texture,
        catalog: &Vec<CatalogEntry>,
        transform: &Transform,
        offsets: &Vec<(i32, i32, i32)>,
        normal: Direction,
        col: u32,
        row: u32,
        raster: Ghost<Raster>,
    ) -> (ok: bool)
        requires
            texture.wf(),
            self.x + self.width <= texture.width,
            self.y + self.height <= texture.height,
            col < self.width,
            row < self.height,
            raster@.steps == transform.step_seq(),
            raster@.scale == transform.scaling,
            raster@.offsets == offsets@,
            raster@.normal == normal,
        ensures
            ok == texel_writes(raster@, *texture, catalog@, self@, col as int, row as int) is Some,
            ok ==> final(writes)@.map_values(|w: (Coords, Palette)| (w.0, w.1@)) == old(
                writes,
            )@.map_values(|w: (Coords, Palette)| (w.0, w.1@)) + texel_writes(
                raster@,
                *texture,
                catalog@,
                self@,
                col as int,
                row as int,
            )->0,
    {
        let ghost rs = raster@;
        let ghost old_view = writes@.map_values(|w: (Coords, Palette)| (w.0, w.1@));
        let ty = (self.y + row) as usize;
        let tx = (self.x + col) as usize;
        proof {
            assert(texture.rows@[ty as int]@.len() == texture.width);
        }
        let px: [u8; 4] = texture.rows[ty][tx];
        if px[3] < 128 {
            proof {
                assert(writes@.map_values(|w: (Coords, Palette)| (w.0, w.1@)) =~= old_view
                    + Seq::<(Coords, PaletteView)>::empty());
            }
            return true;
        }
        if col > i32::MAX as u32 || row > i32::MAX as u32 {
            return false;
        }
        let anchor = match transform.checked_apply(col as i32, 0, row as i32) {
            Some(a) => a,
            None => return false,
        };
        let material = find_closest(catalog, &px, normal);
        let ghost anchor_i = (anchor.0 as int, anchor.1 as int, anchor.2 as int);
        let mut k: usize = 0;
        while k < offsets.len()
            invariant
                k <= offsets@.len(),
                rs.offsets == offsets@,
                anchor_i == (anchor.0 as int, anchor.1 as int, anchor.2 as int),
                rs == raster@,
                anchor_i == steps_point(
                    rs.steps,
                    rs.scale,
                    scale_point(rs.scale, (col as int, 0, row as int)),
                ),
                material@ == selection(catalog@, px@, normal),
                px@ == texture.texel(self.x + col, self.y + row),
                px@[3] >= 128,
                old_view == old(writes)@.map_values(|w: (Coords, Palette)| (w.0, w.1@)),
                forall|j: int|
                    0 <= j < k ==> point_in_i32(#[trigger] offset_point(anchor_i, offsets@[j])),
                writes@.map_values(|w: (Coords, Palette)| (w.0, w.1@)) == old_view
                    + offsets@.take(k as int).map_values(
                    |o: (i32, i32, i32)| (to_coords(offset_point(anchor_i, o)), material@),
                ),
            decreases offsets@.len() - k,
        {
            let o = offsets[k];
            let x = anchor.0 as i64 + o.0 as i64;
            let y = anchor.1 as i64 + o.1 as i64;
            let z = anchor.2 as i64 + o.2 as i64;
            if x < i32::MIN as i64 || x > i32::MAX as i64 || y < i32::MIN as i64 || y
                > i32::MAX as i64 || z < i32::MIN as i64 || z > i32::MAX as i64 {
                proof {
                    assert(!point_in_i32(offset_point(anchor_i, offsets@[k as int])));
                    assert(texel_voxels(rs, col as int, row as int) is None);
                }
                return false;
            }
            let ghost prev = writes@;
            let entry = (Coords { x: x as i32, y: y as i32, z: z as i32 }, material.duplicate());
            writes.push(entry);
            k = k + 1;
            proof {
                assert(entry.0 == to_coords(offset_point(anchor_i, offsets@[k - 1])));
                assert(writes@.map_values(|w: (Coords, Palette)| (w.0, w.1@)) =~= prev.map_values(
                    |w: (Coords, Palette)| (w.0, w.1@),
                ).push((entry.0, entry.1@)));
                assert(offsets@.take(k as int).map_values(
                    |o: (i32, i32, i32)| (to_coords(offset_point(anchor_i, o)), material@),
                ) =~= offsets@.take(k - 1).map_values(
                    |o: (i32, i32, i32)| (to_coords(offset_point(anchor_i, o)), material@),
                ).push((to_coords(offset_point(anchor_i, offsets@[k - 1])), material@)));
                assert(writes@.map_values(|w: (Coords, Palette)| (w.0, w.1@)) =~= old_view
                    + offsets@.take(k as int).map_values(
                    |o: (i32, i32, i32)| (to_coords(offset_point(anchor_i, o)), material@),
                ));
            }
        }
        proof {
            assert(offsets@.take(k as int) =~= offsets@);
            let vs = texel_voxels(rs, col as int, row as int)->0;
            assert(vs.map_values(|c: Coords| (c, material@)) =~= offsets@.map_values(
                |o: (i32, i32, i32)| (to_coords(offset_point(anchor_i, o)), material@),
            ));
        }
        true
    }
}

/// A drawable primitive of a model.
#[derive(Debug)]
pub enum Primitive {
    Cuboid(Cuboid),
    Plane(Plane),
}

/// A box with a texture rectangle for each of its six faces, placed by `position`.
#[derive(Debug)]
pub struct Cuboid {
    pub dimensions: Dimensions3D,
    pub offsets: TextureOffsets,
    pub position: Transform,
}

/// A flat rectangle painted through the whole voxel thickness, placed by `position`.
#[derive(Debug)]
pub struct Plane {
    pub dimensions: Dimensions2D,
    pub offset: (u32, u32),
    pub position: Transform,
}

/// What a primitive is: its kind, size, texture placement and placement steps.
pub enum PrimitiveShape {
    Cuboid(Dimensions3D, TextureOffsets, Seq<TransformStep>),
    Plane(Dimensions2D, (u32, u32), Seq<TransformStep>),
}

impl PrimitiveShape {
    /// The same primitive with other placement steps.
    pub open spec fn update_position(self, steps: Seq<TransformStep>) -> PrimitiveShape {
        match self {
            PrimitiveShape::Cuboid(d, o, _) => PrimitiveShape::Cuboid(d, o, steps),
            PrimitiveShape::Plane(d, o, _) => PrimitiveShape::Plane(d, o, steps),
        }
    }
}

impl Primitive {
    pub open spec fn shape(&self) -> PrimitiveShape {
        match self {
            Primitive::Cuboid(c) => PrimitiveShape::Cuboid(c.dimensions, c.offsets, c.position.step_seq()),
            Primitive::Plane(p) => PrimitiveShape::Plane(p.dimensions, p.offset, p.position.step_seq()),
        }
    }
}

pub open spec fn face_view(x: u32, y: u32, width: u32, height: u32, steps: Seq<TransformStep>) -> FaceView {
    FaceView { x, y, width, height, steps }
}

/// Each dimension of the cuboid fits in `i32`.
pub open spec fn dimensions_fit(d: Dimensions3D) -> bool {
    d.x <= i32::MAX && d.y <= i32::MAX && d.z <= i32::MAX
}

/// The six faces of a cuboid, each with the brush of its outward side: top,
/// bottom, back, right, left, front.
pub open spec fn cuboid_faces(c: Cuboid) -> Seq<(FaceView, Brush)> {
    let d = c.dimensions;
    let o = c.offsets;
    let dx = d.x as int;
    let dy = d.y as int;
    let dz = d.z as int;
    seq![
        (
            face_view(o.top.0, o.top.1, d.x, d.z, seq![
                TransformStep::Translate { dx: 1, dy: 0, dz: (1 - dz) as i32 },
            ]),
            Brush::YPos,
        ),
        (
            face_view(o.bottom.0, o.bottom.1, d.x, d.z, seq![
                TransformStep::Translate { dx: 1, dy: (1 - dy) as i32, dz: (1 - dz) as i32 },
            ]),
            Brush::YNeg,
        ),
        (
            face_view(o.back.0, o.back.1, d.x, d.y, seq![
                TransformStep::Rotate(Rotation::XPos),
                TransformStep::Rotate(Rotation::YPos),
                TransformStep::Rotate(Rotation::YPos),
                TransformStep::Translate { dx: dx as i32, dy: 0, dz: (1 - dz) as i32 },
            ]),
            Brush::YPos,
        ),
        (
            face_view(o.right.0, o.right.1, d.z, d.y, seq![
                TransformStep::Rotate(Rotation::XPos),
                TransformStep::Rotate(Rotation::YNeg),
                TransformStep::Translate { dx: 1, dy: 0, dz: (1 - dz) as i32 },
            ]),
            Brush::YPos,
        ),
        (
            face_view(o.left.0, o.left.1, d.z, d.y, seq![
                TransformStep::Rotate(Rotation::XPos),
                TransformStep::Rotate(Rotation::YPos),
                TransformStep::Translate { dx: dx as i32, dy: 0, dz: 0 },
            ]),
            Brush::YPos,
        ),
        (
            face_view(o.front.0, o.front.1, d.x, d.y, seq![
                TransformStep::Rotate(Rotation::XPos),
                TransformStep::Translate { dx: 1, dy: 0, dz: 0 },
            ]),
            Brush::YPos,
        ),
    ]
}

/// The one face of a plane: its rectangle, no steps of its own, and the `Full` brush.
pub open spec fn plane_face(p: Plane) -> (FaceView, Brush) {
    (face_view(p.offset.0, p.offset.1, p.dimensions.x, p.dimensions.y, Seq::empty()), Brush::Full)
}

/// A cuboid of the given size and texture rectangles, placed by `position`.
pub open spec fn cuboid_shape(
    dimensions: (u32, u32, u32),
    top: (u32, u32),
    bottom: (u32, u32),
    right: (u32, u32),
    left: (u32, u32),
    front: (u32, u32),
    back: (u32, u32),
    position: Seq<TransformStep>,
) -> PrimitiveShape {
    PrimitiveShape::Cuboid(
        Dimensions3D { x: dimensions.0, y: dimensions.1, z: dimensions.2 },
        TextureOffsets { top, bottom, right, left, front, back },
        position,
    )
}

impl Cuboid {
    /// A cuboid with the same size, texture rectangles and placement.
    pub fn duplicate(&self) -> (r: Self)
        ensures
            Primitive::Cuboid(r).shape() == Primitive::Cuboid(*self).shape(),
            r.position.scaling == self.position.scaling,
    {
        Cuboid {
            dimensions: self.dimensions,
            offsets: self.offsets,
            position: self.position.duplicate(),
        }
    }

    /// The six faces, each with the brush of its outward side.
    pub fn faces(&self) -> (r: Vec<(Face, Brush)>)
        requires
            dimensions_fit(self.dimensions),
        ensures
            r@.len() == 6,
            forall|i: int|
                0 <= i < 6 ==> (#[trigger] r@[i].0@, r@[i].1) == cuboid_faces(*self)[i],
    {
        let d = self.dimensions;
        let o = self.offsets;
        let x = d.x as i32;
        let y = d.y as i32;
        let z = d.z as i32;
        let top = Face {
            x: o.top.0,
            y: o.top.1,
            width: d.x,
            height: d.z,
            transform: Transform::new().translate(1, 0, 1 - z),
        };
        let bottom = Face {
            x: o.bottom.0,
            y: o.bottom.1,
            width: d.x,
            height: d.z,
            transform: Transform::new().translate(1, 1 - y, 1 - z),
        };
        let back = Face {
            x: o.back.0,
            y: o.back.1,
            width: d.x,
            height: d.y,
            transform: Transform::new().rotate(Rotation::XPos).rotate(Rotation::YPos).rotate(
                Rotation::YPos,
            ).translate(x, 0, 1 - z),
        };
        let right = Face {
            x: o.right.0,
            y: o.right.1,
            width: d.z,
            height: d.y,
            transform: Transform::new().rotate(Rotation::XPos).rotate(Rotation::YNeg).translate(
                1,
                0,
                1 - z,
            ),
        };
        let left = Face {
            x: o.left.0,
            y: o.left.1,
            width: d.z,
            height: d.y,
            transform: Transform::new().rotate(Rotation::XPos).rotate(Rotation::YPos).translate(
                x,
                0,
                0,
            ),
        };
        let front = Face {
            x: o.front.0,
            y: o.front.1,
            width: d.x,
            height: d.y,
            transform: Transform::new().rotate(Rotation::XPos).translate(1, 0, 0),
        };
        proof {
            let spec_faces = cuboid_faces(*self);
            assert(back.transform.step_seq() =~= spec_faces[2].0.steps);
            assert(right.transform.step_seq() =~= spec_faces[3].0.steps);
            assert(left.transform.step_seq() =~= spec_faces[4].0.steps);
            assert(front.transform.step_seq() =~= spec_faces[5].0.steps);
            assert(top.transform.step_seq() =~= spec_faces[0].0.steps);
            assert(bottom.transform.step_seq() =~= spec_faces[1].0.steps);
            assert(top@ == spec_faces[0].0);
            assert(bottom@ == spec_faces[1].0);
            assert(back@ == spec_faces[2].0);
            assert(right@ == spec_faces[3].0);
            assert(left@ == spec_faces[4].0);
            assert(front@ == spec_faces[5].0);
        }
        let mut r: Vec<(Face, Brush)> = Vec::new();
        r.push((top, Brush::YPos));
        r.push((bottom, Brush::YNeg));
        r.push((back, Brush::YPos));
        r.push((right, Brush::YPos));
        r.push((left, Brush::YPos));
        r.push((front, Brush::YPos));
        r
    }
}

impl Plane {
    /// The single face, painted with the `Full` brush.
    pub fn face(&self) -> (r: (Face, Brush))
        ensures
            (r.0@, r.1) == plane_face(*self),
    {
        let f = Face {
            x: self.offset.0,
            y: self.offset.1,
            width: self.dimensions.x,
            height: self.dimensions.y,
            transform: Transform::new(),
        };
        proof {
            assert(f@ == plane_face(*self).0);
        }
        (f, Brush::Full)
    }
}

/// One face to draw: the face, its brush, and the placement steps of its primitive.
pub type FaceJob = (FaceView, Brush, Seq<TransformStep>);

pub open spec fn primitive_jobs(p: Primitive) -> Seq<FaceJob> {
    match p {
        Primitive::Cuboid(c) => cuboid_faces(c).map_values(
            |f: (FaceView, Brush)| (f.0, f.1, c.position.step_seq()),
        ),
        Primitive::Plane(q) => seq![(plane_face(q).0, plane_face(q).1, q.position.step_seq())],
    }
}

/// The faces of the primitives, in order.
pub open spec fn all_jobs(parts: Seq<Primitive>) -> Seq<FaceJob>
    decreases parts.len(),
{
    if parts.len() == 0 {
        Seq::empty()
    } else {
        primitive_jobs(parts[0]) + all_jobs(parts.drop_first())
    }
}

/// Drawing faces one after another at scale `scale`, stopping at the first
/// that fails; the faces drawn before it stay drawn.
pub open spec fn jobs_outcome(
    s: StructureContents,
    jobs: Seq<FaceJob>,
    texture: Texture,
    catalog: Seq<CatalogEntry>,
    scale: int,
) -> (StructureContents, Result<(), DrawError>)
    decreases jobs.len(),
{
    if jobs.len() == 0 {
        (s, Ok(()))
    } else {
        let j = jobs[0];
        let (s1, r1) = face_draw_outcome(s, j.0, texture, catalog, Seq::empty(), scale, j.2, j.1);
        if r1 is Err {
            (s1, r1)
        } else {
            jobs_outcome(s1, jobs.drop_first(), texture, catalog, scale)
        }
    }
}

/// Every cuboid among the primitives has dimensions that fit in `i32`.
pub open spec fn parts_fit(parts: Seq<Primitive>) -> bool {
    forall|i: int|
        0 <= i < parts.len() ==> (#[trigger] parts[i] matches Primitive::Cuboid(c) ==> dimensions_fit(
            c.dimensions,
        ))
}

fn check_parts(parts: &Vec<Primitive>) -> (r: bool)
    ensures
        r == parts_fit(parts@),
{
    let mut i: usize = 0;
    while i < parts.len()
        invariant
            i <= parts@.len(),
            forall|k: int|
                0 <= k < i ==> (#[trigger] parts@[k] matches Primitive::Cuboid(c) ==> dimensions_fit(
                    c.dimensions,
                )),
        decreases parts@.len() - i,
    {
        if let Primitive::Cuboid(c) = &parts[i] {
            let d = c.dimensions;
            if d.x > i32::MAX as u32 || d.y > i32::MAX as u32 || d.z > i32::MAX as u32 {
                return false;
            }
        }
        i = i + 1;
    }
    true
}

/// Draws every face of every primitive at the given scale, in order: the
/// six faces of a cuboid, the one face of a plane. Stops at the first face
/// that fails. Fails with `Overflow`, drawing nothing, when the scale or a
/// cuboid's dimensions do not fit in `i32`.
pub fn draw_primitives(
    parts: &Vec<Primitive>,
    structure: &mut Structure,
    scaling: u32,
    texture: &Texture,
    catalog: &Vec<CatalogEntry>,
) -> (r: Result<(), DrawError>)
    requires
        texture.wf(),
    ensures
        scaling > i32::MAX || !parts_fit(parts@) ==> r == Err::<(), DrawError>(DrawError::Overflow)
            && final(structure).view_parts() == old(structure).view_parts(),
        scaling <= i32::MAX && parts_fit(parts@) ==> (final(structure).view_parts(), r)
            == jobs_outcome(
            old(structure).view_parts(),
            all_jobs(parts@),
            *texture,
            catalog@,
            scaling as int,
        ),
        final(structure).data_version == old(structure).data_version,
        final(structure).size == old(structure).size,
        structure_wf(old(structure).view_parts()) ==> structure_wf(final(structure).view_parts()),
{
    if scaling > i32::MAX as u32 || !check_parts(parts) {
        return Err(DrawError::Overflow);
    }
    let transform = Transform::with_scale(scaling);
    let ghost goal = jobs_outcome(
        structure.view_parts(),
        all_jobs(parts@),
        *texture,
        catalog@,
        scaling as int,
    );
    let mut i: usize = 0;
    proof {
        assert(parts@.skip(0) =~= parts@);
    }
    while i < parts.len()
        invariant
            i <= parts@.len(),
            texture.wf(),
            parts_fit(parts@),
            transform.step_seq() == Seq::<TransformStep>::empty(),
            transform.scaling == scaling,
            goal == jobs_outcome(
                old(structure).view_parts(),
                all_jobs(parts@),
                *texture,
                catalog@,
                scaling as int,
            ),
            goal == jobs_outcome(
                structure.view_parts(),
                all_jobs(parts@.skip(i as int)),
                *texture,
                catalog@,
                scaling as int,
            ),
            structure.data_version == old(structure).data_version,
            structure.size == old(structure).size,
            structure_wf(old(structure).view_parts()) ==> structure_wf(structure.view_parts()),
        decreases parts@.len() - i,
    {
        let ghost rest = all_jobs(parts@.skip(i + 1));
        proof {
            assert(parts@.skip(i as int).drop_first() =~= parts@.skip(i + 1));
            assert(parts@.skip(i as int)[0] == parts@[i as int]);
        }
        match &parts[i] {
            Primitive::Cuboid(cuboid) => {
                proof {
                    assert(parts@[i as int] matches Primitive::Cuboid(c) ==> dimensions_fit(c.dimensions));
                }
                let faces = cuboid.faces();
                let ghost pj = primitive_jobs(parts@[i as int]);
                let mut j: usize = 0;
                proof {
                    assert(pj.skip(0) =~= pj);
                }
                while j < faces.len()
                    invariant
                        j <= faces@.len(),
                        faces@.len() == 6,
                        pj.len() == 6,
                        forall|k: int|
                            0 <= k < 6 ==> (#[trigger] faces@[k].0@, faces@[k].1, cuboid.position.step_seq())
                                == pj[k],
                        texture.wf(),
                        parts_fit(parts@),
                        i < parts@.len(),
                        parts@[i as int] == Primitive::Cuboid(*cuboid),
                        transform.step_seq() == Seq::<TransformStep>::empty(),
                        transform.scaling == scaling,
                        goal == jobs_outcome(
                            old(structure).view_parts(),
                            all_jobs(parts@),
                            *texture,
                            catalog@,
                            scaling as int,
                        ),
                        goal == jobs_outcome(
                            structure.view_parts(),
                            pj.skip(j as int) + rest,
                            *texture,
                            catalog@,
                            scaling as int,
                        ),
                        structure.data_version == old(structure).data_version,
                        structure.size == old(structure).size,
                        structure_wf(old(structure).view_parts()) ==> structure_wf(
                            structure.view_parts(),
                        ),
                    decreases faces@.len() - j,
                {
                    proof {
                        assert((pj.skip(j as int) + rest)[0] == pj[j as int]);
                        assert((pj.skip(j as int) + rest).drop_first() =~= pj.skip(j + 1) + rest);
                    }
                    let (face, brush) = &faces[j];
                    let res = face.draw(structure, texture, catalog, &transform, &cuboid.position, *brush);
                    if res.is_err() {
                        return res;
                    }
                    j = j + 1;
                }
                proof {
                    assert(pj.skip(j as int) + rest =~= rest);
                }
            },
            Primitive::Plane(plane) => {
                let (face, brush) = plane.face();
                let ghost pj = primitive_jobs(parts@[i as int]);
                proof {
                    assert((pj + rest)[0] == pj[0]);
                    assert((pj + rest).drop_first() =~= rest);
                }
                let res = face.draw(structure, texture, catalog, &transform, &plane.position, brush);
                if res.is_err() {
                    return res;
                }
            },
        }
        i = i + 1;
    }
    proof {
        assert(parts@.skip(i as int) =~= Seq::<Primitive>::empty());
    }
    Ok(())
}

proof fn lemma_row_writes_none_after(
    r: Raster,
    texture: Texture,
    catalog: Seq<CatalogEntry>,
    face: FaceView,
    row: int,
    col: int,
)
    requires
        0 <= col < face.width,
        texel_writes(r, texture, catalog, face, col, row) is None,
    ensures
        row_writes(r, texture, catalog, face, row, face.width as int) is None,
    decreases face.width - col,
{
    lemma_row_writes_none_from(r, texture, catalog, face, row, col, face.width as int);
}

proof fn lemma_row_writes_none_from(
    r: Raster,
    texture: Texture,
    catalog: Seq<CatalogEntry>,
    face: FaceView,
    row: int,
    col: int,
    n: int,
)
    requires
        0 <= col < n,
        texel_writes(r, texture, catalog, face, col, row) is None,
    ensures
        row_writes(r, texture, catalog, face, row, n) is None,
    decreases n,
{
    if n - 1 > col {
        lemma_row_writes_none_from(r, texture, catalog, face, row, col, n - 1);
    }
}

proof fn lemma_rect_writes_none(
    r: Raster,
    texture: Texture,
    catalog: Seq<CatalogEntry>,
    face: FaceView,
    row: int,
)
    requires
        0 <= row < face.height,
        row_writes(r, texture, catalog, face, row, face.width as int) is None,
    ensures
        rect_writes(r, texture, catalog, face, face.height as int) is None,
{
    lemma_rect_writes_none_from(r, texture, catalog, face, row, face.height as int);
}

proof fn lemma_rect_writes_none_from(
    r: Raster,
    texture: Texture,
    catalog: Seq<CatalogEntry>,
    face: FaceView,
    row: int,
    n: int,
)
    requires
        0 <= row < n,
        row_writes(r, texture, catalog, face, row, face.width as int) is None,
    ensures
        rect_writes(r, texture, catalog, face, n) is None,
    decreases n,
{
    if n - 1 > row {
        lemma_rect_writes_none_from(r, texture, catalog, face, row, n - 1);
    }
}

} // verus!
